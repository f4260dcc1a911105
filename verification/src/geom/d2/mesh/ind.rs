use vstd::prelude::*;
use crate::geom::d2::prim::seg::PSeg;
use crate::geom::d2::prim::vect::{
    can_v_add, can_v_mul, splat, v_diff, v_neg, v_prod, v_quot, v_sum, Coords, Vect, Vector,
};
use crate::geom::d2::shape::d2::{bounds_fold, Bounds};
use crate::geom::mesh::ind::IndSeg;
use crate::num::{exact, total, Float};
use crate::ops::{add_exact, mul_exact, HAdd, HMul};
use crate::rel::{at_most, min_of, ord_exact, HPOrd};

verus! {

/// A planar wireframe: vertices, and segments that join two of them by index.
pub struct IndSegMesh<V: Vector> {
    pub vertices: Vec<V>,
    pub segments: Vec<IndSeg>,
}

/// Every end of every segment is an index below `n`.
pub open spec fn in_range(segs: Seq<IndSeg>, n: nat) -> bool {
    forall|k: int| 0 <= k < segs.len() ==> (#[trigger] segs[k]).a < n && segs[k].b < n
}

/// The vertices adjacent to `index`: for every segment that touches it and is
/// no self-loop, the other end, in the order of the segments.
pub open spec fn adjacent_of(segs: Seq<IndSeg>, index: usize) -> Seq<usize>
    decreases segs.len(),
{
    if segs.len() == 0 {
        Seq::empty()
    } else {
        let rest = adjacent_of(segs.drop_last(), index);
        let seg = segs.last();
        if seg.a == seg.b {
            rest
        } else if seg.a == index {
            rest.push(seg.b)
        } else if seg.b == index {
            rest.push(seg.a)
        } else {
            rest
        }
    }
}

/// The segment `seg` makes `other` a neighbour of `index`.
pub open spec fn joins(seg: IndSeg, index: usize, other: usize) -> bool {
    !seg.is_loop() && (seg.a == index && seg.b == other || seg.b == index && seg.a == other)
}

/// The index of the leftmost of the first `k` points: the one of smallest x,
/// the earliest where several are as small.
pub open spec fn leftmost_of<A: PartialOrd>(ps: Seq<Vect<A>>, k: nat) -> nat
    decreases k,
{
    if k <= 1 {
        0
    } else {
        let best = leftmost_of(ps, (k - 1) as nat);
        if at_most(ps[best as int].0, ps[k - 1].0) {
            best
        } else {
            (k - 1) as nat
        }
    }
}

/// The point `p` of a mesh with the given bounds after the mesh was moved to
/// the origin and scaled, by one factor, to fill the view in one direction
/// and to fit into it in the other.
pub open spec fn fitted<A: Float + PartialOrd>(
    p: Vect<A>,
    bounds: (Vect<A>, Vect<A>),
    view: Vect<A>,
) -> Vect<A> {
    let (start, end) = bounds;
    let scales = v_quot(view, v_diff(end, start));
    v_prod(v_sum(p, v_neg(start)), splat(min_of(scales.0, scales.1)))
}

/// Membership in the adjacency list: `other` is listed for `index` exactly
/// when some segment that is no self-loop joins the two.
pub proof fn lemma_adjacent_members(segs: Seq<IndSeg>, index: usize, other: usize)
    ensures
        adjacent_of(segs, index).contains(other) <==> exists|k: int|
            0 <= k < segs.len() && joins(#[trigger] segs[k], index, other),
    decreases segs.len(),
{
    if segs.len() == 0 {
        assert(!adjacent_of(segs, index).contains(other));
    } else {
        let front = segs.drop_last();
        let seg = segs.last();
        let rest = adjacent_of(front, index);
        lemma_adjacent_members(front, index, other);
        if adjacent_of(segs, index).contains(other) {
            if rest.contains(other) {
                let k = choose|k: int| 0 <= k < front.len() && joins(#[trigger] front[k], index, other);
                assert(segs[k] == front[k]);
            } else {
                let adj = adjacent_of(segs, index);
                let w = choose|w: int| 0 <= w < adj.len() && adj[w] == other;
                assert(adj.len() == rest.len() + 1);
                if w < rest.len() {
                    assert(rest[w] == other);
                    assert(rest.contains(other));
                }
                assert(joins(segs[segs.len() - 1], index, other));
            }
        }
        if exists|k: int| 0 <= k < segs.len() && joins(#[trigger] segs[k], index, other) {
            let k = choose|k: int| 0 <= k < segs.len() && joins(#[trigger] segs[k], index, other);
            let adj = adjacent_of(segs, index);
            if k < front.len() {
                assert(front[k] == segs[k]);
                assert(rest.contains(other));
                let w = choose|w: int| 0 <= w < rest.len() && rest[w] == other;
                assert(adj[w] == other);
            } else {
                assert(segs[k] == seg);
                assert(adj == rest.push(other));
                assert(adj[rest.len() as int] == other);
            }
        }
    }
}

/// Every listed neighbour is an end of a segment, so an index of the mesh
/// where the segments are in range.
pub proof fn lemma_adjacent_in_range(segs: Seq<IndSeg>, index: usize, n: nat)
    requires
        in_range(segs, n),
    ensures
        forall|w: int|
            0 <= w < adjacent_of(segs, index).len() ==> (#[trigger] adjacent_of(segs, index)[w])
                < n,
    decreases segs.len(),
{
    if segs.len() > 0 {
        let front = segs.drop_last();
        assert forall|k: int| 0 <= k < front.len() implies (#[trigger] front[k]).a < n
            && front[k].b < n by {
            assert(front[k] == segs[k]);
        }
        lemma_adjacent_in_range(front, index, n);
        let rest = adjacent_of(front, index);
        let adj = adjacent_of(segs, index);
        let seg = segs[segs.len() - 1];
        assert(segs.last() == seg);
        assert(seg.a < n && seg.b < n);
        assert forall|w: int| 0 <= w < adj.len() implies (#[trigger] adj[w]) < n by {
            if w < rest.len() {
                assert(adj[w] == rest[w]);
            }
        }
    }
}

/// The leftmost of the first `k` points is one of them.
pub proof fn lemma_leftmost_in_range<A: PartialOrd>(ps: Seq<Vect<A>>, k: nat)
    requires
        1 <= k,
    ensures
        leftmost_of(ps, k) < k,
    decreases k,
{
    if k > 1 {
        lemma_leftmost_in_range(ps, (k - 1) as nat);
    }
}

/// The leftmost point is minimal: no point lies further left, and every
/// earlier point lies strictly further right. This holds where `<=` on the
/// scalar type is total and transitive.
pub proof fn lemma_leftmost_is_minimal<A: PartialOrd>(ps: Seq<Vect<A>>, k: nat)
    requires
        1 <= k <= ps.len(),
        forall|a: A, b: A| #[trigger] at_most(a, b) || at_most(b, a),
        forall|a: A, b: A, c: A| #[trigger] at_most(a, b) && #[trigger] at_most(b, c) ==> at_most(a, c),
    ensures
        leftmost_of(ps, k) < k,
        forall|j: int| 0 <= j < k ==> at_most(ps[leftmost_of(ps, k) as int].0, #[trigger] ps[j].0),
        forall|j: int|
            0 <= j < leftmost_of(ps, k) ==> !at_most(
                (#[trigger] ps[j]).0,
                ps[leftmost_of(ps, k) as int].0,
            ),
    decreases k,
{
    if k > 1 {
        lemma_leftmost_is_minimal(ps, (k - 1) as nat);
        let best = leftmost_of(ps, (k - 1) as nat);
        let last = ps[k - 1];
        if at_most(ps[best as int].0, last.0) {
            assert forall|j: int| 0 <= j < k implies at_most(ps[best as int].0, #[trigger] ps[j].0) by {
                if j < k - 1 {
                } else {
                }
            }
        } else {
            assert(at_most(last.0, ps[best as int].0));
            assert forall|j: int| 0 <= j < k implies at_most(last.0, #[trigger] ps[j].0) by {
                if j < k - 1 {
                    assert(at_most(ps[best as int].0, ps[j].0));
                } else {
                    assert(at_most(last.0, last.0));
                }
            }
            assert forall|j: int| 0 <= j < k - 1 implies !at_most((#[trigger] ps[j]).0, last.0) by {
                if at_most(ps[j].0, last.0) {
                    assert(at_most(ps[best as int].0, ps[j].0));
                    assert(at_most(ps[best as int].0, last.0));
                }
            }
        }
    } else {
        assert(at_most(ps[0].0, ps[0].0));
    }
}

impl<V: Vector> IndSegMesh<V> {
    /// the positions of the vertices
    pub open spec fn points(&self) -> Seq<Vect<V::Val>> {
        Seq::new(self.vertices@.len(), |i: int| self.vertices@[i].xy())
    }

    /// Every index in a segment is the index of a vertex.
    pub open spec fn wf(&self) -> bool {
        in_range(self.segments@, self.vertices@.len())
    }

    pub fn new_unchecked(vertices: Vec<V>, segments: Vec<IndSeg>) -> (mesh: IndSegMesh<V>)
        ensures
            mesh.vertices == vertices,
            mesh.segments == segments,
    {
        IndSegMesh { vertices: vertices, segments: segments }
    }

    /// true if every index in a segment is the index of a vertex
    pub fn valid(&self) -> (r: bool)
        ensures
            r == self.wf(),
    {
        let n = self.vertices.len();
        let mut k: usize = 0;
        while k < self.segments.len()
            invariant
                k <= self.segments.len(),
                n == self.vertices.len(),
                in_range(self.segments@.take(k as int), n as nat),
            decreases self.segments.len() - k,
        {
            let seg = &self.segments[k];
            if seg.a() >= n || seg.b() >= n {
                return false;
            }
            assert forall|j: int| 0 <= j < k + 1 implies (#[trigger] self.segments@.take(
                k + 1,
            )[j]).a < n && self.segments@.take(k + 1)[j].b < n by {
                if j < k {
                    assert(self.segments@.take(k as int)[j] == self.segments@[j]);
                }
            }
            k += 1;
        }
        assert(self.segments@.take(k as int) == self.segments@);
        true
    }

    pub fn vertices(&self) -> (r: &Vec<V>)
        ensures
            r == &self.vertices,
    {
        &self.vertices
    }

    pub fn vertex(&self, index: usize) -> (r: &V)
        requires
            index < self.vertices.len(),
        ensures
            *r == self.vertices[index as int],
            r.xy() == self.points()[index as int],
    {
        &self.vertices[index]
    }

    pub fn segments(&self) -> (r: &Vec<IndSeg>)
        ensures
            r == &self.segments,
    {
        &self.segments
    }

    /// the segment between the two vertices that `seg` names
    pub fn point_segment(&self, seg: &IndSeg) -> (r: PSeg<Vect<V::Val>>)
        requires
            seg.a < self.vertices.len(),
            seg.b < self.vertices.len(),
        ensures
            r.a == self.points()[seg.a as int],
            r.b == self.points()[seg.b as int],
    {
        let a = V::of(self.vertex(seg.a()));
        let b = V::of(self.vertex(seg.b()));

        PSeg::new(a, b)
    }

    /// the indices of the vertices that a segment joins to `index`
    pub fn adjacent_vertex_indecis(&self, index: usize) -> (r: Vec<usize>)
        ensures
            r@ == adjacent_of(self.segments@, index),
            self.wf() ==> forall|w: int| 0 <= w < r.len() ==> #[trigger] r[w] < self.vertices.len(),
    {
        let mut adjacent_vertex_indecis = Vec::new();

        let mut k: usize = 0;
        while k < self.segments.len()
            invariant
                k <= self.segments.len(),
                adjacent_vertex_indecis@ == adjacent_of(self.segments@.take(k as int), index),
            decreases self.segments.len() - k,
        {
            let segment = &self.segments[k];
            assert(self.segments@.take(k + 1).drop_last() == self.segments@.take(k as int));
            k += 1;

            if segment.a() == segment.b() {
                continue ;
            }
            if segment.a() == index {
                adjacent_vertex_indecis.push(segment.b());
                continue ;
            }
            if segment.b() == index {
                adjacent_vertex_indecis.push(segment.a());
                continue ;
            }
        }
        assert(self.segments@.take(k as int) == self.segments@);
        proof {
            if self.wf() {
                lemma_adjacent_in_range(self.segments@, index, self.vertices@.len());
            }
        }

        adjacent_vertex_indecis
    }

    /// The componentwise minimum and maximum over all vertices; none for a
    /// mesh without vertices.
    pub fn bounds(&self) -> (r: Option<Bounds<Vect<V::Val>>>) where V::Val: HPOrd
        ensures
            r is None <==> self.vertices.len() == 0,
            ord_exact::<V::Val>() && r is Some ==> r->0.corners() == bounds_fold(
                self.points(),
                self.vertices@.len(),
            ),
    {
        if self.vertices.len() == 0 {
            return None;
        }
        let mut start = V::of(&self.vertices[0]);
        let mut end = V::of(&self.vertices[0]);

        let mut k: usize = 0;
        while k < self.vertices.len()
            invariant
                k <= self.vertices.len(),
                self.vertices.len() > 0,
                ord_exact::<V::Val>() ==> (start, end) == bounds_fold(self.points(), k as nat),
            decreases self.vertices.len() - k,
        {
            let vertex = &self.vertices[k];
            start = Vector::min(&start, vertex);
            end = Vector::max(&end, vertex);
            k += 1;
        }

        Some(Bounds::new_unchecked(start, end))
    }

    /// The index of the vertex of smallest x, the first of them where several
    /// are as small; none for a mesh without vertices.
    pub fn leftmost(&self) -> (r: Option<usize>) where V::Val: HPOrd
        ensures
            r is None <==> self.vertices.len() == 0,
            r is Some ==> r->0 < self.vertices.len(),
            ord_exact::<V::Val>() && r is Some ==> r->0 == leftmost_of(
                self.points(),
                self.vertices@.len(),
            ),
    {
        if self.vertices.len() == 0 {
            return None;
        }
        let mut best: usize = 0;
        let mut k: usize = 1;
        while k < self.vertices.len()
            invariant
                1 <= k <= self.vertices.len(),
                best < k,
                ord_exact::<V::Val>() ==> best == leftmost_of(self.points(), k as nat),
            decreases self.vertices.len() - k,
        {
            if !(self.vertices[best].x() <= self.vertices[k].x()) {
                best = k;
            }
            k += 1;
        }
        Some(best)
    }
}

impl<V: Vector> IndSegMesh<V> {
    /// The start of a contour: the leftmost vertex alone, none for a mesh
    /// without vertices. The number of points asked for plays no part.
    pub fn rrrcontour(&self, max: usize) -> (r: Option<Vec<Vect<V::Val>>>) where V::Val: HPOrd
        ensures
            r is None <==> self.vertices.len() == 0,
            r is Some ==> r->0.len() == 1 && exists|i: int|
                0 <= i < self.vertices.len() && r->0[0] == #[trigger] self.points()[i],
            ord_exact::<V::Val>() && r is Some ==> r->0[0] == self.points()[leftmost_of(
                self.points(),
                self.vertices@.len(),
            ) as int],
    {
        // return None if mesh contains no vertices
        let first_vertex_index = self.leftmost()?;

        // contour that is returned
        let mut contour = Vec::new();
        contour.push(V::of(self.vertex(first_vertex_index)));

        Some(contour)
    }
}

impl<A: Copy> IndSegMesh<Vect<A>> {
    /// Moves every vertex by `vect`; the segments stay as they are.
    pub fn add_mut<V: Coords<Val = A>>(&mut self, vect: V) where A: HAdd
        requires
            forall|i: int|
                0 <= i < old(self).vertices.len() ==> can_v_add(
                    #[trigger] old(self).vertices[i],
                    vect.xy(),
                ),
        ensures
            final(self).segments == old(self).segments,
            final(self).vertices.len() == old(self).vertices.len(),
            add_exact::<A>() ==> forall|i: int|
                0 <= i < old(self).vertices.len() ==> #[trigger] final(self).vertices[i] == v_sum(
                    old(self).vertices[i],
                    vect.xy(),
                ),
    {
        let mut k: usize = 0;
        while k < self.vertices.len()
            invariant
                k <= self.vertices.len(),
                self.segments == old(self).segments,
                self.vertices.len() == old(self).vertices.len(),
                forall|i: int|
                    0 <= i < old(self).vertices.len() ==> can_v_add(
                        #[trigger] old(self).vertices[i],
                        vect.xy(),
                    ),
                forall|i: int|
                    k <= i < self.vertices.len() ==> #[trigger] self.vertices[i] == old(
                        self,
                    ).vertices[i],
                add_exact::<A>() ==> forall|i: int|
                    0 <= i < k ==> #[trigger] self.vertices[i] == v_sum(
                        old(self).vertices[i],
                        vect.xy(),
                    ),
            decreases self.vertices.len() - k,
        {
            assert(self.vertices[k as int] == old(self).vertices[k as int]);
            let moved = self.vertices[k].add(&vect);
            self.vertices.set(k, moved);
            k += 1;
        }
    }

    /// Multiplies every value of every vertex by `val`; the segments stay as
    /// they are.
    pub fn vmul_mut(&mut self, val: A) where A: HMul
        requires
            forall|i: int|
                0 <= i < old(self).vertices.len() ==> can_v_mul(
                    #[trigger] old(self).vertices[i],
                    splat(val),
                ),
        ensures
            final(self).segments == old(self).segments,
            final(self).vertices.len() == old(self).vertices.len(),
            mul_exact::<A>() ==> forall|i: int|
                0 <= i < old(self).vertices.len() ==> #[trigger] final(self).vertices[i]
                    == v_prod(old(self).vertices[i], splat(val)),
    {
        let mut k: usize = 0;
        while k < self.vertices.len()
            invariant
                k <= self.vertices.len(),
                self.segments == old(self).segments,
                self.vertices.len() == old(self).vertices.len(),
                forall|i: int|
                    0 <= i < old(self).vertices.len() ==> can_v_mul(
                        #[trigger] old(self).vertices[i],
                        splat(val),
                    ),
                forall|i: int|
                    k <= i < self.vertices.len() ==> #[trigger] self.vertices[i] == old(
                        self,
                    ).vertices[i],
                mul_exact::<A>() ==> forall|i: int|
                    0 <= i < k ==> #[trigger] self.vertices[i] == v_prod(
                        old(self).vertices[i],
                        splat(val),
                    ),
            decreases self.vertices.len() - k,
        {
            assert(self.vertices[k as int] == old(self).vertices[k as int]);
            let scaled = self.vertices[k].vmul(val);
            self.vertices.set(k, scaled);
            k += 1;
        }
    }

    /// Moves the mesh to the origin and scales it into a view of the given
    /// width and height, by the same factor in both directions.
    pub fn fit_to(&mut self, view: Vect<A>) where A: Float + HPOrd
        requires
            old(self).vertices.len() > 0,
            total::<A>(),
        ensures
            final(self).segments == old(self).segments,
            final(self).vertices.len() == old(self).vertices.len(),
            exact::<A>() ==> forall|i: int|
                0 <= i < old(self).vertices.len() ==> #[trigger] final(self).vertices[i] == fitted(
                    old(self).vertices[i],
                    bounds_fold(old(self).points(), old(self).vertices@.len()),
                    view,
                ),
    {
        let bounds = match self.bounds() {
            Some(bounds) => bounds,
            None => {
                return ;
            },
        };
        let scales = view.div(bounds.size());
        let scale = scales.x().min(scales.y());

        let ghost before = self.vertices@;
        self.add_mut(bounds.start().neg());
        let ghost moved = self.vertices@;
        self.vmul_mut(scale);
        assert(exact::<A>() ==> forall|i: int|
            0 <= i < before.len() ==> #[trigger] self.vertices@[i] == v_prod(
                moved[i],
                splat(scale),
            ));
    }
}

} // verus!
